use ecs_arena::game::{
    Game, DECOR_RADIUS, MOBILE_RADIUS, MOBILE_START, MOBILE_VEL_X, MOBILE_VEL_Y,
};

#[test]
fn grid_count_matches_formula() {
    let g = Game::new();
    // floor(10000/25 - 1) * floor(5000/25 - 1) decorative entities plus one.
    assert_eq!(g.entities_count, 399 * 199 + 1);
    assert_eq!(g.entities_count, 79402);
    assert_eq!(g.world.entity_count, 79402);
}

#[test]
fn decorative_count_on_a_small_arena() {
    let g = Game::with_arena(100, 100, 25);
    // 100/25 = 4 cells per axis, so 3 interior lines per axis.
    assert_eq!(g.entities_count, 3 * 3 + 1);
}

#[test]
fn arena_not_divisible_by_spacing() {
    // 10/3 rounds down to 3 cells, so 2 interior lines; 3/3 = 1 cell, none.
    let g = Game::with_arena(10, 3, 3);
    assert_eq!(g.entities_count, 1);
    let g = Game::with_arena(10, 10, 3);
    assert_eq!(g.entities_count, 2 * 2 + 1);
}

#[test]
fn spacing_larger_than_arena_leaves_only_the_mobile_entity() {
    let g = Game::with_arena(10, 10, 30);
    assert_eq!(g.entities_count, 1);
}

#[test]
fn grid_positions_are_column_major_multiples_of_the_spacing() {
    let g = Game::with_arena(100, 100, 25);
    // Three rows per column; entity k sits at column k/3, row k%3, both
    // 1-based, times 25 units (25_000_000 micro-units).
    let expected: [(i64, i64); 9] = [
        (25, 25),
        (25, 50),
        (25, 75),
        (50, 25),
        (50, 50),
        (50, 75),
        (75, 25),
        (75, 50),
        (75, 75),
    ];
    for (k, (xu, yu)) in expected.iter().enumerate() {
        let loc = (*g.world.locations.get(k)).unwrap();
        assert_eq!(loc.x, xu * 1_000_000);
        assert_eq!(loc.y, yu * 1_000_000);
        let size = (*g.world.sizes.get(k)).unwrap();
        assert_eq!(size.radius, DECOR_RADIUS);
        let color = (*g.world.colors.get(k)).unwrap();
        assert_eq!((color.red, color.green, color.blue, color.alpha), (1000, 1000, 1000, 300));
        assert!(g.world.velocities.get(k).is_none());
    }
}

#[test]
fn mobile_entity_is_last_with_velocity() {
    let g = Game::with_arena(100, 100, 25);
    let id = g.entities_count - 1;
    let loc = (*g.world.locations.get(id)).unwrap();
    assert_eq!((loc.x, loc.y), (MOBILE_START, MOBILE_START));
    let size = (*g.world.sizes.get(id)).unwrap();
    assert_eq!(size.radius, MOBILE_RADIUS);
    let color = (*g.world.colors.get(id)).unwrap();
    assert_eq!((color.red, color.green, color.blue, color.alpha), (1000, 1000, 0, 1000));
    let vel = (*g.world.velocities.get(id)).unwrap();
    assert_eq!((vel.x, vel.y), (MOBILE_VEL_X, MOBILE_VEL_Y));
}

#[test]
fn fresh_camera_sits_at_the_origin() {
    let g = Game::new();
    assert_eq!(g.world.camera.x, 0);
    assert_eq!(g.world.camera.y, 0);
    assert_eq!(g.world.camera.width, 1_024_000_000);
    assert_eq!(g.world.camera.height, 768_000_000);
    assert_eq!(g.world.delta.millis, 16);
}
